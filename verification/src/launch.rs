//! Construction of the invocation for the external trace-management
//! executable.
//!
//! The library only builds names and argument lists; spawning the process
//! and waiting on it happen outside it.

use vstd::prelude::*;
use crate::request::{TraceRequest, TraceRequestView};

verus! {

/// The service target: `<host>:service_mgr` against a remote host, the
/// bare local service-manager identifier otherwise.
pub open spec fn service_target_text(host: Option<Seq<char>>) -> Seq<char> {
    match host {
        Option::Some(h) => h + ":service_mgr"@,
        Option::None => "service_mgr"@,
    }
}

/// The full argument list handed to the external executable: service
/// target, credentials, the fixed session name, and the configuration
/// file path.
pub open spec fn launch_args_text(r: TraceRequestView) -> Seq<Seq<char>> {
    seq![
        "-SE"@,
        service_target_text(r.host),
        "-USER"@,
        r.user,
        "-PASS"@,
        r.pass,
        "-START"@,
        "-NAME"@,
        "rust-fbtrace"@,
        "-CONFIG"@,
        "fbtrace.conf"@,
    ]
}

/// Name of the external trace-management executable.
pub fn executable_name() -> (r: &'static str)
    ensures
        r@ == "fbtracemgr"@,
{
    "fbtracemgr"
}

/// The fixed path of the configuration file, relative to the working
/// directory.
pub fn config_file_name() -> (r: &'static str)
    ensures
        r@ == "fbtrace.conf"@,
{
    "fbtrace.conf"
}

/// The fixed name under which this tool's trace sessions run.
pub fn trace_session_name() -> (r: &'static str)
    ensures
        r@ == "rust-fbtrace"@,
{
    "rust-fbtrace"
}

/// Build the argument list for the external executable, exactly as
/// [`launch_args_text`] states it.
pub fn build_launch_args(req: &TraceRequest) -> (r: Vec<String>)
    ensures
        r.deep_view() == launch_args_text(req@),
{
    let mut args: Vec<String> = Vec::new();
    args.push(String::from_str("-SE"));
    let target = match &req.host {
        Option::Some(h) => {
            let mut t = h.clone();
            t.append(":service_mgr");
            t
        },
        Option::None => String::from_str("service_mgr"),
    };
    args.push(target);
    args.push(String::from_str("-USER"));
    args.push(req.user.clone());
    args.push(String::from_str("-PASS"));
    args.push(req.pass.clone());
    args.push(String::from_str("-START"));
    args.push(String::from_str("-NAME"));
    args.push(String::from_str("rust-fbtrace"));
    args.push(String::from_str("-CONFIG"));
    args.push(String::from_str("fbtrace.conf"));
    proof {
        assert(args.deep_view() =~= launch_args_text(req@));
    }
    args
}

} // verus!
