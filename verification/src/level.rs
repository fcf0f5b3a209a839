//! Severity levels and how they are read from text.

use vstd::prelude::*;

verus! {

/// Severity of a span or an event, from the least verbose (`Error`) to the
/// most verbose (`Trace`).
#[derive(Clone, Copy, Debug, PartialEq, Eq, Structural)]
pub enum Level {
    Error,
    Warn,
    Info,
    Debug,
    Trace,
}

/// What `tracing_core` reads from a piece of text as a level, `None` where it
/// rejects the text.
pub uninterp spec fn parsed_level(text: Seq<char>) -> Option<Level>;

impl Level {
    /// Position of the level in the order of increasing verbosity.
    pub open spec fn verbosity(self) -> nat {
        match self {
            Level::Error => 1,
            Level::Warn => 2,
            Level::Info => 3,
            Level::Debug => 4,
            Level::Trace => 5,
        }
    }

    /// A record at level `self` passes a rule whose threshold is `threshold`
    /// when it is not more verbose than the threshold.
    pub open spec fn passes(self, threshold: Level) -> bool {
        self.verbosity() <= threshold.verbosity()
    }

    /// The number behind [`Level::verbosity`].
    pub fn rank(self) -> (rank: u8)
        ensures
            rank == self.verbosity(),
    {
        match self {
            Level::Error => 1,
            Level::Warn => 2,
            Level::Info => 3,
            Level::Debug => 4,
            Level::Trace => 5,
        }
    }

    /// Decides whether a record at this level passes `threshold`.
    pub fn is_within(self, threshold: Level) -> (within: bool)
        ensures
            within == self.passes(threshold),
    {
        self.rank() <= threshold.rank()
    }

    /// Reads a level from text, as `tracing_core` does.
    pub fn parse(text: &str) -> (level: Option<Level>)
        ensures
            level == parsed_level(text@),
    {
        level_from_str(text)
    }

    /// Reads the threshold of a filter rule: the level that `text` names, or
    /// `Trace` where `text` is empty or names no level.
    pub fn threshold_from(text: &str) -> (level: Level)
        ensures
            level == threshold_of(text@),
    {
        if text.unicode_len() == 0 {
            Level::Trace
        } else {
            match level_from_str(text) {
                Some(level) => level,
                None => Level::Trace,
            }
        }
    }
}

/// The threshold that a rule gets from the text behind its `=`.
pub open spec fn threshold_of(text: Seq<char>) -> Level {
    if text.len() == 0 {
        Level::Trace
    } else {
        match parsed_level(text) {
            Some(level) => level,
            None => Level::Trace,
        }
    }
}

/// Calls `<tracing_core::Level as FromStr>::from_str`.
///
/// The contract only names the outcome: the same text always gives the same
/// level or the same rejection. Which texts are accepted is left to
/// `tracing_core`.
#[verifier::external_body]
fn level_from_str(text: &str) -> (level: Option<Level>)
    ensures
        level == parsed_level(text@),
{
    match text.parse::<tracing_core::Level>() {
        Ok(tracing_core::Level::ERROR) => Some(Level::Error),
        Ok(tracing_core::Level::WARN) => Some(Level::Warn),
        Ok(tracing_core::Level::INFO) => Some(Level::Info),
        Ok(tracing_core::Level::DEBUG) => Some(Level::Debug),
        Ok(tracing_core::Level::TRACE) => Some(Level::Trace),
        Err(_) => None,
    }
}

} // verus!
