//! Run-wide settings: verbosity, always-pull and no-run.
//!
//! Each setting can be fixed once. Until it is, readers see its default.

use vstd::prelude::*;

verus! {

/// Most verbose level of message that is let through.
#[derive(Clone, Copy, Debug, PartialEq, Eq, Structural)]
pub enum LevelFilter {
    Off,
    Error,
    Warn,
    Info,
    Debug,
    Trace,
}

/// Importance of one message.
#[derive(Clone, Copy, Debug, PartialEq, Eq, Structural)]
pub enum Level {
    Error,
    Warn,
    Info,
    Debug,
    Trace,
}

/// Whether `name` is `upper` or `lower`, or mixes the two letter by letter.
pub open spec fn same_letters(name: Seq<char>, upper: Seq<char>, lower: Seq<char>) -> bool {
    &&& name.len() == upper.len()
    &&& name.len() == lower.len()
    &&& forall|i: int| 0 <= i < name.len() ==> name[i] == upper[i] || name[i] == lower[i]
}

/// Whether `name` is `upper` or `lower`, or mixes the two letter by letter.
fn has_letters(name: &str, upper: &str, lower: &str) -> (same: bool)
    requires
        upper@.len() == lower@.len(),
    ensures
        same == same_letters(name@, upper@, lower@),
{
    let len = name.unicode_len();
    if len != upper.unicode_len() {
        return false;
    }
    let mut i: usize = 0;
    while i < len
        invariant
            i <= len,
            len == name@.len(),
            len == upper@.len(),
            len == lower@.len(),
            forall|j: int| 0 <= j < i ==> name@[j] == upper@[j] || name@[j] == lower@[j],
        decreases len - i,
    {
        let c = name.get_char(i);
        if c != upper.get_char(i) && c != lower.get_char(i) {
            return false;
        }
        i += 1;
    }
    true
}

impl LevelFilter {
    /// The filter that a name stands for, whatever the case of its letters:
    /// `off`, `error`, `warn`, `info`, `debug` or `trace`.
    pub open spec fn named(name: Seq<char>) -> Option<LevelFilter> {
        if same_letters(name, "OFF"@, "off"@) {
            Some(LevelFilter::Off)
        } else if same_letters(name, "ERROR"@, "error"@) {
            Some(LevelFilter::Error)
        } else if same_letters(name, "WARN"@, "warn"@) {
            Some(LevelFilter::Warn)
        } else if same_letters(name, "INFO"@, "info"@) {
            Some(LevelFilter::Info)
        } else if same_letters(name, "DEBUG"@, "debug"@) {
            Some(LevelFilter::Debug)
        } else if same_letters(name, "TRACE"@, "trace"@) {
            Some(LevelFilter::Trace)
        } else {
            None
        }
    }

    /// The filter that `name` stands for, or `None` where it names none.
    pub fn from_name(name: &str) -> (filter: Option<LevelFilter>)
        ensures
            filter == LevelFilter::named(name@),
    {
        proof {
            reveal_strlit("OFF");
            reveal_strlit("off");
            reveal_strlit("ERROR");
            reveal_strlit("error");
            reveal_strlit("WARN");
            reveal_strlit("warn");
            reveal_strlit("INFO");
            reveal_strlit("info");
            reveal_strlit("DEBUG");
            reveal_strlit("debug");
            reveal_strlit("TRACE");
            reveal_strlit("trace");
        }
        if has_letters(name, "OFF", "off") {
            Some(LevelFilter::Off)
        } else if has_letters(name, "ERROR", "error") {
            Some(LevelFilter::Error)
        } else if has_letters(name, "WARN", "warn") {
            Some(LevelFilter::Warn)
        } else if has_letters(name, "INFO", "info") {
            Some(LevelFilter::Info)
        } else if has_letters(name, "DEBUG", "debug") {
            Some(LevelFilter::Debug)
        } else if has_letters(name, "TRACE", "trace") {
            Some(LevelFilter::Trace)
        } else {
            None
        }
    }

    /// Position of the filter, from `Off` (0) to `Trace` (5).
    pub open spec fn rank(self) -> nat {
        match self {
            LevelFilter::Off => 0,
            LevelFilter::Error => 1,
            LevelFilter::Warn => 2,
            LevelFilter::Info => 3,
            LevelFilter::Debug => 4,
            LevelFilter::Trace => 5,
        }
    }

    /// Whether a message of `level` passes this filter.
    pub fn allows(self, level: Level) -> (yes: bool)
        ensures
            yes == (level.rank() <= self.rank()),
    {
        let bound: u8 = match self {
            LevelFilter::Off => 0,
            LevelFilter::Error => 1,
            LevelFilter::Warn => 2,
            LevelFilter::Info => 3,
            LevelFilter::Debug => 4,
            LevelFilter::Trace => 5,
        };
        let rank: u8 = match level {
            Level::Error => 1,
            Level::Warn => 2,
            Level::Info => 3,
            Level::Debug => 4,
            Level::Trace => 5,
        };
        rank <= bound
    }
}

impl Level {
    /// Position of the level, from `Error` (1) to `Trace` (5).
    pub open spec fn rank(self) -> nat {
        match self {
            Level::Error => 1,
            Level::Warn => 2,
            Level::Info => 3,
            Level::Debug => 4,
            Level::Trace => 5,
        }
    }
}

/// The three run-wide settings, each unset (`None`) until fixed.
#[derive(Clone, Copy, Debug, PartialEq, Eq, Structural)]
pub struct Settings {
    pub verbosity: Option<LevelFilter>,
    pub always_pull: Option<bool>,
    pub no_run: Option<bool>,
}

impl Settings {
    /// The verbosity in force: the fixed one, or `Trace` while none is fixed.
    pub open spec fn filter(self) -> LevelFilter {
        match self.verbosity {
            Some(value) => value,
            None => LevelFilter::Trace,
        }
    }

    /// Settings with nothing fixed yet.
    pub fn new() -> (settings: Settings)
        ensures
            settings == (Settings { verbosity: None, always_pull: None, no_run: None }),
    {
        Settings { verbosity: None, always_pull: None, no_run: None }
    }
}

/// The verbosity in force: the fixed one, or `Trace` while none is fixed.
pub fn verbosity(settings: &Settings) -> (filter: LevelFilter)
    ensures
        filter == settings.filter(),
{
    match settings.verbosity {
        Some(value) => value,
        None => LevelFilter::Trace,
    }
}

/// Fixes the verbosity. It can be fixed once only.
pub fn set_global_verbosity(settings: &mut Settings, verbosity: LevelFilter)
    requires
        old(settings).verbosity is None,
    ensures
        *final(settings) == (Settings { verbosity: Some(verbosity), ..*old(settings) }),
{
    settings.verbosity = Some(verbosity);
}

/// Fixes whether images are pulled before every start. It can be fixed once only.
pub fn set_global_always_pull(settings: &mut Settings, always_pull: bool)
    requires
        old(settings).always_pull is None,
    ensures
        *final(settings) == (Settings { always_pull: Some(always_pull), ..*old(settings) }),
{
    settings.always_pull = Some(always_pull);
}

/// Whether images are pulled before every start: `false` while nothing is fixed.
pub fn always_pull(settings: &Settings) -> (pull: bool)
    ensures
        pull == match settings.always_pull {
            Some(value) => value,
            None => false,
        },
{
    match settings.always_pull {
        Some(value) => value,
        None => false,
    }
}

/// Fixes whether the orchestrator is left uncalled. It can be fixed once only.
pub fn set_global_no_run(settings: &mut Settings, no_run: bool)
    requires
        old(settings).no_run is None,
    ensures
        *final(settings) == (Settings { no_run: Some(no_run), ..*old(settings) }),
{
    settings.no_run = Some(no_run);
}

/// Whether the orchestrator is left uncalled: `false` while nothing is fixed.
pub fn no_run(settings: &Settings) -> (skip: bool)
    ensures
        skip == match settings.no_run {
            Some(value) => value,
            None => false,
        },
{
    match settings.no_run {
        Some(value) => value,
        None => false,
    }
}


/// A setting is fixed once: after any of the three was fixed, it is no
/// longer unset, so it cannot be fixed a second time.
pub proof fn lemma_settings_are_fixed_once(
    settings: Settings,
    verbosity: LevelFilter,
    always_pull: bool,
    no_run: bool,
)
    ensures
        !((Settings { verbosity: Some(verbosity), ..settings }).verbosity is None),
        !((Settings { always_pull: Some(always_pull), ..settings }).always_pull is None),
        !((Settings { no_run: Some(no_run), ..settings }).no_run is None),
{
}

} // verus!
