//! The closed error taxonomy of a trace run.
//!
//! Each variant carries its causal payload as plain text; the message a
//! user sees is produced by [`TraceError::message`], whose contract pins
//! the text exactly.

use vstd::prelude::*;

verus! {

/// Everything that can abort a run, in stage order: an illegal event
/// identifier, a failure writing the configuration file, a failure
/// spawning the external executable.
#[derive(Debug)]
pub enum TraceError {
    /// A requested event identifier is not in the legal catalog.
    InvalidEvent(String),
    /// Opening or writing the configuration file failed; the payload is
    /// the rendered I/O cause.
    ConfigIoError(String),
    /// Spawning the external trace-management executable failed; the
    /// payload is the rendered cause.
    LaunchError(String),
}

/// The legal catalog, rendered as a bracketed, comma-separated list of
/// quoted identifiers.
pub open spec fn legal_list_text() -> Seq<char> {
    "[\"transactions\", \"statement_prepare\", \"statement_free\", \"statement_start\", \"statement_finish\", \"procedure_start\", \"procedure_finish\", \"trigger_start\", \"trigger_finish\", \"context\", \"errors\", \"sweep\"]"@
}

/// The message shown for an illegal event identifier: it names the
/// identifier and the full legal catalog.
pub open spec fn invalid_event_text(name: Seq<char>) -> Seq<char> {
    "The specified event '"@ + name
        + "' is not a valid for subscription. Valid events are "@
        + legal_list_text() + "."@
}

/// The user-facing text of each error.
pub open spec fn error_text(e: TraceError) -> Seq<char> {
    match e {
        TraceError::InvalidEvent(name) => invalid_event_text(name@),
        TraceError::ConfigIoError(cause) => cause@,
        TraceError::LaunchError(cause) => cause@,
    }
}

impl TraceError {
    /// Render the user-facing message.
    pub fn message(&self) -> (r: String)
        ensures
            r@ == error_text(*self),
    {
        match self {
            TraceError::InvalidEvent(name) => {
                let mut s = String::from_str("The specified event '");
                s.append(name.as_str());
                s.append("' is not a valid for subscription. Valid events are ");
                s.append("[\"transactions\", \"statement_prepare\", \"statement_free\", \"statement_start\", \"statement_finish\", \"procedure_start\", \"procedure_finish\", \"trigger_start\", \"trigger_finish\", \"context\", \"errors\", \"sweep\"]");
                s.append(".");
                proof {
                    assert(s@ =~= error_text(*self));
                }
                s
            },
            TraceError::ConfigIoError(cause) => cause.clone(),
            TraceError::LaunchError(cause) => cause.clone(),
        }
    }
}

} // verus!
