//! Platform sinks: where a rendered line goes for each severity. Exactly one
//! sink is in use in a build; the caller carries out the `Delivery` that the
//! sink decides on.
use vstd::prelude::*;

use crate::severity::Severity;

verus! {

/// The tag under which the system-log sink records every line.
pub const SYSTEM_LOG_TAG: &'static str = "rust-graphics-log";

/// The thread identity that the console bridge shows: a script host runs a
/// single thread.
pub fn get_now() -> (r: &'static str)
    ensures
        r@ == seq!['t', 'h', 'r', 'e', 'a', 'd', '-', 'i', 'd'],
{
    proof { reveal_strlit("thread-id"); }
    "thread-id"
}

/// The platform sinks.
#[derive(Clone, Copy, Debug, PartialEq, Eq, Structural)]
pub enum Sink {
    /// The process's standard output and error streams.
    StandardStreams,
    /// The host system's native log, with a numeric priority.
    SystemLog,
    /// A script host's console object.
    ConsoleBridge,
}

/// One concrete output endpoint.
#[derive(Clone, Copy, Debug, PartialEq, Eq, Structural)]
pub enum Channel {
    StandardOutput,
    StandardError,
    /// The native log entry point, called with this priority and `SYSTEM_LOG_TAG`.
    SystemLog { priority: i32 },
    ConsoleInfo,
    ConsoleError,
}

/// What a sink does with one line: write `text` to `channel`, then end the
/// calling unit, with `text` as the reason, if `terminates` holds.
pub struct Delivery {
    pub channel: Channel,
    pub text: String,
    pub terminates: bool,
}

impl Sink {
    /// The channel that this sink writes messages of `severity` to.
    pub open spec fn channel_spec(self, severity: Severity) -> Channel {
        match self {
            Sink::StandardStreams => match severity {
                Severity::Info => Channel::StandardOutput,
                _ => Channel::StandardError,
            },
            Sink::SystemLog => Channel::SystemLog { priority: severity.priority_spec() },
            Sink::ConsoleBridge => match severity {
                Severity::Info => Channel::ConsoleInfo,
                _ => Channel::ConsoleError,
            },
        }
    }

    pub fn channel(&self, severity: Severity) -> (r: Channel)
        ensures
            r == self.channel_spec(severity),
    {
        match self {
            Sink::StandardStreams => match severity {
                Severity::Info => Channel::StandardOutput,
                _ => Channel::StandardError,
            },
            Sink::SystemLog => Channel::SystemLog { priority: severity.priority() },
            Sink::ConsoleBridge => match severity {
                Severity::Info => Channel::ConsoleInfo,
                _ => Channel::ConsoleError,
            },
        }
    }

    /// Writes a rendered line of `severity`: the line goes unchanged to the
    /// channel of that severity, and only a fatal line ends the calling unit.
    pub fn write(&self, severity: Severity, text: String) -> (r: Delivery)
        ensures
            r.channel == self.channel_spec(severity),
            r.text@ == text@,
            r.terminates == (severity == Severity::Fatal),
    {
        Delivery { channel: self.channel(severity), text, terminates: severity.is_fatal() }
    }
}

} // verus!
