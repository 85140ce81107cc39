//! The three severities a message can carry.
use vstd::prelude::*;

verus! {

/// How serious a message is. Only `Fatal` changes what happens after the
/// message is written: the calling unit ends.
#[derive(Clone, Copy, Debug, PartialEq, Eq, Structural)]
pub enum Severity {
    Info,
    Error,
    Fatal,
}

impl Severity {
    /// The tag written between brackets in the envelope.
    pub open spec fn tag_spec(self) -> Seq<char> {
        match self {
            Severity::Info => seq!['i', 'n', 'f', 'o'],
            Severity::Error => seq!['e', 'r', 'r', 'o', 'r'],
            Severity::Fatal => seq!['f', 'a', 't', 'a', 'l'],
        }
    }

    /// The priority on the host system log's own scale.
    pub open spec fn priority_spec(self) -> i32 {
        match self {
            Severity::Info => 4,
            Severity::Error => 6,
            Severity::Fatal => 7,
        }
    }

    pub fn tag(&self) -> (r: &'static str)
        ensures
            r@ == self.tag_spec(),
    {
        match self {
            Severity::Info => {
                proof { reveal_strlit("info"); }
                "info"
            },
            Severity::Error => {
                proof { reveal_strlit("error"); }
                "error"
            },
            Severity::Fatal => {
                proof { reveal_strlit("fatal"); }
                "fatal"
            },
        }
    }

    pub fn priority(&self) -> (r: i32)
        ensures
            r == self.priority_spec(),
    {
        match self {
            Severity::Info => 4,
            Severity::Error => 6,
            Severity::Fatal => 7,
        }
    }

    /// Whether writing a message of this severity ends the calling unit.
    pub fn is_fatal(&self) -> (r: bool)
        ensures
            r == (*self == Severity::Fatal),
    {
        match self {
            Severity::Fatal => true,
            _ => false,
        }
    }
}

} // verus!
