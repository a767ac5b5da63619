//! The calls that hand a message to the host's log.

use vstd::prelude::*;
use crate::host::{HostCall, HostCallView};
use crate::text::{host_string, lemma_representable_chars, representable, to_host};

verus! {

/// The severities of the host's log, from none to the most verbose.
#[derive(Debug, Clone, Copy, PartialEq, Eq)]
pub enum Level {
    Off,
    Emerg,
    Alert,
    Criti,
    Error,
    Warng,
    Notice,
    Info,
    Debug,
}

impl Level {
    /// The number by which the host knows the severity.
    pub open spec fn spec_tag(self) -> i32 {
        match self {
            Level::Off => 0,
            Level::Emerg => 1,
            Level::Alert => 2,
            Level::Criti => 3,
            Level::Error => 4,
            Level::Warng => 5,
            Level::Notice => 6,
            Level::Info => 7,
            Level::Debug => 8,
        }
    }

    /// The number by which the host knows the severity.
    #[verifier::when_used_as_spec(spec_tag)]
    pub fn tag(self) -> (tag: i32)
        ensures
            tag == self.spec_tag(),
    {
        match self {
            Level::Off => 0,
            Level::Emerg => 1,
            Level::Alert => 2,
            Level::Criti => 3,
            Level::Error => 4,
            Level::Warng => 5,
            Level::Notice => 6,
            Level::Info => 7,
            Level::Debug => 8,
        }
    }
}

/// What stands for the caller's name where the caller gives none.
pub const CALLER: &'static str = "__function__";

/// The line that every entry reports.
pub const LINE: i32 = 0;

/// The log call for `message` at `level`, as coming from `function`.
pub open spec fn entry(level: Level, function: Seq<char>, message: Seq<char>) -> HostCallView {
    HostCallView::Log {
        level: level.spec_tag(),
        function: host_string(function),
        line: LINE,
        content: host_string(message),
    }
}

/// The host can hold the name that stands for the caller.
pub proof fn lemma_caller_representable()
    ensures
        representable(CALLER@),
{
    reveal_strlit("__function__");
    lemma_representable_chars(CALLER@);
}

fn log(level: Level, function: &str, message: &str) -> (call: HostCall)
    requires
        representable(function@),
        representable(message@),
    ensures
        call@ == entry(level, function@, message@),
        call@.well_formed(),
{
    HostCall::Log {
        level: level.tag(),
        function: to_host(function),
        line: LINE,
        content: to_host(message),
    }
}

/// The call that logs `message` as an emergency.
pub fn emerg(message: &str) -> (call: HostCall)
    requires
        representable(message@),
    ensures
        call@ == entry(Level::Emerg, CALLER@, message@),
        call@.well_formed(),
{
    proof {
        lemma_caller_representable();
    }
    log(Level::Emerg, CALLER, message)
}

/// The call that logs `message` as an alert.
pub fn alert(message: &str) -> (call: HostCall)
    requires
        representable(message@),
    ensures
        call@ == entry(Level::Alert, CALLER@, message@),
        call@.well_formed(),
{
    proof {
        lemma_caller_representable();
    }
    log(Level::Alert, CALLER, message)
}

/// The call that logs `message` as critical.
pub fn criti(message: &str) -> (call: HostCall)
    requires
        representable(message@),
    ensures
        call@ == entry(Level::Criti, CALLER@, message@),
        call@.well_formed(),
{
    proof {
        lemma_caller_representable();
    }
    log(Level::Criti, CALLER, message)
}

/// The call that logs `message` as a warning.
pub fn warng(message: &str) -> (call: HostCall)
    requires
        representable(message@),
    ensures
        call@ == entry(Level::Warng, CALLER@, message@),
        call@.well_formed(),
{
    proof {
        lemma_caller_representable();
    }
    log(Level::Warng, CALLER, message)
}

/// The call that logs `message` as a notice.
pub fn notice(message: &str) -> (call: HostCall)
    requires
        representable(message@),
    ensures
        call@ == entry(Level::Notice, CALLER@, message@),
        call@.well_formed(),
{
    proof {
        lemma_caller_representable();
    }
    log(Level::Notice, CALLER, message)
}

/// The call that logs `message` as information.
pub fn info(message: &str) -> (call: HostCall)
    requires
        representable(message@),
    ensures
        call@ == entry(Level::Info, CALLER@, message@),
        call@.well_formed(),
{
    proof {
        lemma_caller_representable();
    }
    log(Level::Info, CALLER, message)
}

/// The call that logs `message` as an error.
pub fn error(message: &str) -> (call: HostCall)
    requires
        representable(message@),
    ensures
        call@ == entry(Level::Error, CALLER@, message@),
        call@.well_formed(),
{
    proof {
        lemma_caller_representable();
    }
    log(Level::Error, CALLER, message)
}

/// The call that logs `message` for debugging, as coming from `function`.
pub fn debug(function: &str, message: &str) -> (call: HostCall)
    requires
        representable(function@),
        representable(message@),
    ensures
        call@ == entry(Level::Debug, function@, message@),
        call@.well_formed(),
{
    log(Level::Debug, function, message)
}

} // verus!
