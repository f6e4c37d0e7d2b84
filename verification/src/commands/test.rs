//! A hidden command that says one text at every level of importance.

use vstd::prelude::*;
use crate::error::join3;
use crate::settings::{verbosity, Level, LevelFilter, Settings};

verus! {

/// The arguments of the test command.
#[derive(Debug)]
pub struct Test {
    pub text: String,
}

/// One kind of message of the tool.
#[derive(Clone, Copy, Debug, PartialEq, Eq, Structural)]
pub enum Channel {
    Trace,
    Debug,
    Info,
    Success,
    Waiting,
    Warn,
    Error,
    Display,
    Critical,
}

impl Channel {
    /// The level that the verbosity must let through for the channel to be
    /// heard; `None` for the channels that are always heard.
    pub open spec fn level(self) -> Option<Level> {
        match self {
            Channel::Trace => Some(Level::Trace),
            Channel::Debug => Some(Level::Debug),
            Channel::Info => Some(Level::Info),
            Channel::Success => Some(Level::Info),
            Channel::Waiting => Some(Level::Info),
            Channel::Warn => Some(Level::Warn),
            Channel::Error => Some(Level::Error),
            Channel::Display => None,
            Channel::Critical => None,
        }
    }

    /// The word that the test command puts before its text on this channel.
    pub open spec fn word(self) -> Seq<char> {
        match self {
            Channel::Trace => "trace"@,
            Channel::Debug => "debug"@,
            Channel::Info => "info"@,
            Channel::Success => "success"@,
            Channel::Waiting => "waiting"@,
            Channel::Warn => "warn"@,
            Channel::Error => "error"@,
            Channel::Display => "display"@,
            Channel::Critical => "critical"@,
        }
    }

    /// Whether a message on this channel is heard under `filter`.
    pub open spec fn heard(self, filter: LevelFilter) -> bool {
        match self.level() {
            Some(level) => level.rank() <= filter.rank(),
            None => true,
        }
    }

    /// Whether a message on this channel is heard under `filter`.
    pub fn is_heard(self, filter: LevelFilter) -> (heard: bool)
        ensures
            heard == self.heard(filter),
    {
        match self {
            Channel::Trace => filter.allows(Level::Trace),
            Channel::Debug => filter.allows(Level::Debug),
            Channel::Info => filter.allows(Level::Info),
            Channel::Success => filter.allows(Level::Info),
            Channel::Waiting => filter.allows(Level::Info),
            Channel::Warn => filter.allows(Level::Warn),
            Channel::Error => filter.allows(Level::Error),
            Channel::Display => true,
            Channel::Critical => true,
        }
    }
}

/// The channels in the order in which the test command speaks on them.
pub open spec fn channels() -> Seq<Channel> {
    seq![
        Channel::Trace,
        Channel::Debug,
        Channel::Info,
        Channel::Success,
        Channel::Waiting,
        Channel::Warn,
        Channel::Error,
        Channel::Display,
        Channel::Critical,
    ]
}

/// The messages among the first `count` channels that are heard under
/// `filter`, each with its channel.
pub open spec fn spoken(text: Seq<char>, filter: LevelFilter, count: nat) -> Seq<
    (Channel, Seq<char>),
>
    decreases count,
{
    if count == 0 || count > channels().len() {
        Seq::empty()
    } else {
        let channel = channels()[count - 1];
        let earlier = spoken(text, filter, (count - 1) as nat);
        if channel.heard(filter) {
            earlier.push((channel, channel.word() + " "@ + text))
        } else {
            earlier
        }
    }
}

/// What a list of messages stands for.
pub open spec fn messages_view(messages: Seq<(Channel, String)>) -> Seq<(Channel, Seq<char>)> {
    Seq::new(messages.len(), |i: int| (messages[i].0, messages[i].1@))
}

impl Test {
    /// The messages that the command gives under the verbosity in force:
    /// its text on every channel that is heard, in the order of the channels.
    pub fn exec(&self, settings: &Settings) -> (messages: Vec<(Channel, String)>)
        ensures
            messages_view(messages@) == spoken(self.text@, settings.filter(), 9),
    {
        let filter = verbosity(settings);
        let order: [Channel; 9] = [
            Channel::Trace,
            Channel::Debug,
            Channel::Info,
            Channel::Success,
            Channel::Waiting,
            Channel::Warn,
            Channel::Error,
            Channel::Display,
            Channel::Critical,
        ];
        assert(order@ =~= channels());
        let mut messages: Vec<(Channel, String)> = Vec::new();
        let mut i: usize = 0;
        assert(messages_view(messages@) =~= spoken(self.text@, filter, 0));
        while i < 9
            invariant
                i <= 9,
                order@ == channels(),
                messages_view(messages@) == spoken(self.text@, filter, i as nat),
            decreases 9 - i,
        {
            let channel = order[i];
            let ghost before = messages_view(messages@);
            if channel.is_heard(filter) {
                let word = match channel {
                    Channel::Trace => "trace",
                    Channel::Debug => "debug",
                    Channel::Info => "info",
                    Channel::Success => "success",
                    Channel::Waiting => "waiting",
                    Channel::Warn => "warn",
                    Channel::Error => "error",
                    Channel::Display => "display",
                    Channel::Critical => "critical",
                };
                let line = join3(word, " ", self.text.as_str());
                messages.push((channel, line));
                assert(messages_view(messages@) =~= before.push(
                    (channel, channel.word() + " "@ + self.text@),
                ));
            }
            i += 1;
        }
        messages
    }
}

} // verus!
