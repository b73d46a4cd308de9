use fbtrace::launch::{build_launch_args, config_file_name, executable_name, trace_session_name};
use fbtrace::prepare_run;
use fbtrace::request::TraceRequest;

fn request(host: Option<&str>, events: &[&str]) -> TraceRequest {
    TraceRequest {
        host: host.map(|s| s.to_string()),
        user: "sysdba".to_string(),
        pass: "masterkey".to_string(),
        max_sql: 65536,
        database_matcher: None,
        include_filter: None,
        events: events.iter().map(|s| s.to_string()).collect(),
    }
}

#[test]
fn local_service_target_without_host() {
    let args = build_launch_args(&request(None, &[]));
    assert_eq!(
        args,
        vec![
            "-SE",
            "service_mgr",
            "-USER",
            "sysdba",
            "-PASS",
            "masterkey",
            "-START",
            "-NAME",
            "rust-fbtrace",
            "-CONFIG",
            "fbtrace.conf",
        ]
    );
}

#[test]
fn remote_service_target_with_host() {
    let args = build_launch_args(&request(Some("dbhost"), &[]));
    assert_eq!(args[1], "dbhost:service_mgr");
}

#[test]
fn fixed_names() {
    assert_eq!(executable_name(), "fbtracemgr");
    assert_eq!(config_file_name(), "fbtrace.conf");
    assert_eq!(trace_session_name(), "rust-fbtrace");
}

#[test]
fn prepared_plan_holds_document_and_args() {
    let req = request(Some("remote"), &["errors"]);
    let plan = prepare_run(&req).expect("legal events must validate");
    assert!(plan.document.contains("    log_errors true\n"));
    assert_eq!(plan.args[1], "remote:service_mgr");
    assert_eq!(plan.args.last().unwrap(), "fbtrace.conf");
}
