//! Configure and launch a database audit/trace session.
//!
//! The library validates requested event identifiers against a fixed
//! catalog, renders the textual trace-configuration document that the
//! external trace-management executable reads, and builds the argument
//! list used to invoke that executable. File I/O and process creation
//! live outside the library; everything here is pure computation with
//! proved contracts.

pub mod decimal;
pub mod errors;
pub mod events;
pub mod launch;
pub mod render;
pub mod request;

use vstd::prelude::*;
use crate::errors::TraceError;
use crate::events::{all_legal, first_illegal_at, validate_events};
use crate::launch::{build_launch_args, launch_args_text};
use crate::render::{doc_text, render_config};
use crate::request::TraceRequest;

verus! {

/// Everything a run needs once validation has passed: the rendered
/// configuration document and the argument list for the external
/// executable.
pub struct TracePlan {
    pub document: String,
    pub args: Vec<String>,
}

/// Validate the request and, on success, produce the run's plan: the
/// configuration document to persist and the arguments to launch the
/// external executable with. Succeeds exactly when every requested event
/// identifier is legal; fails naming the first illegal identifier, before
/// anything is rendered.
pub fn prepare_run(req: &TraceRequest) -> (r: Result<TracePlan, TraceError>)
    ensures
        match r {
            Result::Ok(plan) => {
                &&& all_legal(req@.events)
                &&& plan.document@ == doc_text(req@)
                &&& plan.args.deep_view() == launch_args_text(req@)
            },
            Result::Err(e) => {
                &&& !all_legal(req@.events)
                &&& e matches TraceError::InvalidEvent(name) && exists|k: int|
                    #[trigger] first_illegal_at(req@.events, k) && name@ == req@.events[k]
            },
        },
{
    match validate_events(&req.events) {
        Result::Ok(()) => {
            let document = render_config(req);
            let args = build_launch_args(req);
            Ok(TracePlan { document, args })
        },
        Result::Err(e) => Err(e),
    }
}

} // verus!
