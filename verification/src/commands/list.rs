//! Listing the applications of the store.

use vstd::prelude::*;
use crate::error::ComposerError;
use crate::storage::models::{
    records_view, ApplicationView, PersistedApplication, StoreContents,
};
use crate::storage::read_from::get_all_from_storage;
use crate::text::strings_view;

verus! {

/// The arguments of the list command.
#[derive(Debug)]
pub struct List {
    pub quiet: bool,
    pub wide: bool,
}

/// `count` blanks.
pub open spec fn blanks(count: nat) -> Seq<char> {
    Seq::new(count, |i: int| ' ')
}

/// `text`, filled up with blanks on the right to `width` characters; a
/// longer text is left as it is.
pub open spec fn padded(text: Seq<char>, width: nat) -> Seq<char> {
    if text.len() >= width {
        text
    } else {
        text + blanks((width - text.len()) as nat)
    }
}

/// `text`, filled up with blanks on the right to `width` characters.
pub fn pad(text: &str, width: usize) -> (filled: String)
    ensures
        filled@ == padded(text@, width as nat),
{
    let len = text.unicode_len();
    let mut filled = text.to_string();
    let mut have: usize = len;
    proof {
        reveal_strlit(" ");
        assert(filled@ =~= text@ + blanks(0));
    }
    while have < width
        invariant
            len <= have,
            len == text@.len(),
            len < width ==> have <= width,
            len >= width ==> have == len,
            filled@ == text@ + blanks((have - len) as nat),
            " "@ == seq![' '],
        decreases width - have,
    {
        let ghost before = filled@;
        filled.append(" ");
        have += 1;
        assert(filled@ =~= text@ + blanks((have - len) as nat));
    }
    proof {
        if len >= width {
            assert(blanks(0) =~= Seq::<char>::empty());
            assert(filled@ =~= text@);
        }
    }
    filled
}

/// The columns of one line: id, version, uptime, state and name, and with
/// `wide` the template directory, each filled up to the width of its column
/// and parted by one blank.
pub open spec fn line_of(
    id: Seq<char>,
    version: Seq<char>,
    uptime: Seq<char>,
    state: Seq<char>,
    name: Seq<char>,
    compose: Seq<char>,
    wide: bool,
) -> Seq<char> {
    let narrow = padded(id, 20) + " "@ + padded(version, 15) + " "@ + padded(uptime, 15) + " "@
        + padded(state, 15) + " "@ + padded(name, 25);
    if wide {
        narrow + " "@ + padded(compose, 20)
    } else {
        narrow
    }
}

/// One line of the listing.
pub fn format_line(
    id: &str,
    version: &str,
    uptime: &str,
    state: &str,
    name: &str,
    compose: &str,
    wide: bool,
) -> (line: String)
    ensures
        line@ == line_of(id@, version@, uptime@, state@, name@, compose@, wide),
{
    let mut line = pad(id, 20);
    line.append(" ");
    line.append(pad(version, 15).as_str());
    line.append(" ");
    line.append(pad(uptime, 15).as_str());
    line.append(" ");
    line.append(pad(state, 15).as_str());
    line.append(" ");
    line.append(pad(name, 25).as_str());
    if wide {
        line.append(" ");
        line.append(pad(compose, 20).as_str());
    }
    line
}

/// The line that the listing shows for a record: its id alone with
/// `quiet`, else its columns.
pub open spec fn row_of(record: ApplicationView, uptime: Seq<char>, quiet: bool, wide: bool) -> Seq<
    char,
> {
    if quiet {
        record.id
    } else {
        line_of(
            record.id,
            record.version,
            uptime,
            record.state.label(),
            record.app_name,
            record.compose_path,
            wide,
        )
    }
}

/// The uptime to show for the record at `place`: the one given for it, or
/// nothing where none is given.
pub open spec fn uptime_at(uptimes: Seq<Seq<char>>, place: int) -> Seq<char> {
    if 0 <= place < uptimes.len() {
        uptimes[place]
    } else {
        Seq::empty()
    }
}

/// One line for each application, in order. `uptimes` holds, place by
/// place, the time that each has been up, in words.
pub fn print_applications(
    apps: &Vec<PersistedApplication>,
    uptimes: &Vec<String>,
    quiet: bool,
    wide: bool,
) -> (lines: Vec<String>)
    ensures
        lines@.len() == apps@.len(),
        forall|i: int|
            0 <= i < apps@.len() ==> (#[trigger] lines@[i])@ == row_of(
                apps@[i]@,
                uptime_at(strings_view(uptimes@), i),
                quiet,
                wide,
            ),
{
    let mut lines: Vec<String> = Vec::new();
    let mut i: usize = 0;
    while i < apps.len()
        invariant
            i <= apps.len(),
            lines@.len() == i,
            forall|j: int|
                0 <= j < i ==> (#[trigger] lines@[j])@ == row_of(
                    apps@[j]@,
                    uptime_at(strings_view(uptimes@), j),
                    quiet,
                    wide,
                ),
        decreases apps.len() - i,
    {
        let app = &apps[i];
        if quiet {
            lines.push(app.id.clone());
        } else {
            let state = app.state.to_string();
            let line = if i < uptimes.len() {
                format_line(
                    app.id.as_str(),
                    app.version.as_str(),
                    uptimes[i].as_str(),
                    state.as_str(),
                    app.app_name.as_str(),
                    app.compose_path.as_str(),
                    wide,
                )
            } else {
                assert(""@ =~= Seq::<char>::empty()) by {
                    reveal_strlit("");
                }
                format_line(
                    app.id.as_str(),
                    app.version.as_str(),
                    "",
                    state.as_str(),
                    app.app_name.as_str(),
                    app.compose_path.as_str(),
                    wide,
                )
            };
            lines.push(line);
        }
        i += 1;
    }
    lines
}

/// The listing: a heading, unless it is `quiet`, and one line for each application.
#[derive(Debug)]
pub struct Listing {
    pub heading: Option<String>,
    pub lines: Vec<String>,
}

/// The heading of the listing.
pub open spec fn heading_of(wide: bool) -> Seq<char> {
    line_of("APP ID"@, "VERSION"@, "UPTIME"@, "STATUS"@, "APP NAME"@, "COMPOSE"@, wide)
}

impl List {
    /// The listing of the store as it was found. Fails with
    /// `StoreUnreadable` where the store's file is no list of records; a
    /// store without a file gives a listing without lines.
    pub fn exec(&self, contents: StoreContents, uptimes: &Vec<String>) -> (listing: Result<
        Listing,
        ComposerError,
    >)
        ensures
            match contents.records() {
                None => listing matches Err(ComposerError::StoreUnreadable),
                Some(records) => {
                    &&& listing matches Ok(shown)
                    &&& match shown.heading {
                        Some(heading) => !self.quiet && heading@ == heading_of(self.wide),
                        None => self.quiet,
                    }
                    &&& shown.lines@.len() == records.len()
                    &&& forall|i: int|
                        0 <= i < records.len() ==> (#[trigger] shown.lines@[i])@ == row_of(
                            records[i],
                            uptime_at(strings_view(uptimes@), i),
                            self.quiet,
                            self.wide,
                        )
                },
            },
    {
        let all_applications = match get_all_from_storage(contents) {
            Ok(all) => all,
            Err(error) => {
                return Err(error);
            },
        };
        let heading = if self.quiet {
            None
        } else {
            Some(
                format_line(
                    "APP ID",
                    "VERSION",
                    "UPTIME",
                    "STATUS",
                    "APP NAME",
                    "COMPOSE",
                    self.wide,
                ),
            )
        };
        let lines = print_applications(&all_applications, uptimes, self.quiet, self.wide);
        Ok(Listing { heading, lines })
    }
}

} // verus!
