use fbtrace::errors::TraceError;
use fbtrace::events::validate_events;
use fbtrace::prepare_run;
use fbtrace::request::TraceRequest;

const LEGAL: [&str; 12] = [
    "transactions",
    "statement_prepare",
    "statement_free",
    "statement_start",
    "statement_finish",
    "procedure_start",
    "procedure_finish",
    "trigger_start",
    "trigger_finish",
    "context",
    "errors",
    "sweep",
];

fn strings(names: &[&str]) -> Vec<String> {
    names.iter().map(|s| s.to_string()).collect()
}

#[test]
fn every_subset_of_the_catalog_validates() {
    // All singletons, the full catalog, and a sample of larger subsets.
    for name in LEGAL {
        assert!(validate_events(&strings(&[name])).is_ok());
    }
    assert!(validate_events(&strings(&LEGAL)).is_ok());
    assert!(validate_events(&strings(&[])).is_ok());
    assert!(validate_events(&strings(&["errors", "sweep", "context"])).is_ok());
    for mask in 0u32..(1 << 12) {
        let subset: Vec<String> = LEGAL
            .iter()
            .enumerate()
            .filter(|(i, _)| mask & (1 << i) != 0)
            .map(|(_, s)| s.to_string())
            .collect();
        assert!(validate_events(&subset).is_ok(), "subset {mask:b} rejected");
    }
}

#[test]
fn duplicates_are_harmless() {
    assert!(validate_events(&strings(&["errors", "errors", "errors"])).is_ok());
}

#[test]
fn unknown_event_is_rejected_and_named() {
    let r = validate_events(&strings(&["bogus_event"]));
    match r {
        Err(TraceError::InvalidEvent(name)) => assert_eq!(name, "bogus_event"),
        _ => panic!("expected InvalidEvent"),
    }
}

#[test]
fn connections_is_not_a_legal_event() {
    let r = validate_events(&strings(&["connections"]));
    match r {
        Err(TraceError::InvalidEvent(name)) => assert_eq!(name, "connections"),
        _ => panic!("expected InvalidEvent"),
    }
}

#[test]
fn first_illegal_event_in_input_order_is_reported() {
    let r = validate_events(&strings(&["errors", "zig", "zag", "sweep"]));
    match r {
        Err(TraceError::InvalidEvent(name)) => assert_eq!(name, "zig"),
        _ => panic!("expected InvalidEvent"),
    }
}

#[test]
fn invalid_event_aborts_before_rendering() {
    let req = TraceRequest {
        host: None,
        user: "u".to_string(),
        pass: "p".to_string(),
        max_sql: 65536,
        database_matcher: None,
        include_filter: None,
        events: strings(&["bogus_event"]),
    };
    match prepare_run(&req) {
        Err(TraceError::InvalidEvent(name)) => assert_eq!(name, "bogus_event"),
        _ => panic!("expected InvalidEvent"),
    }
}

#[test]
fn invalid_event_message_names_event_and_catalog() {
    let e = TraceError::InvalidEvent("bogus_event".to_string());
    let expected = "The specified event 'bogus_event' is not a valid for subscription. Valid events are [\"transactions\", \"statement_prepare\", \"statement_free\", \"statement_start\", \"statement_finish\", \"procedure_start\", \"procedure_finish\", \"trigger_start\", \"trigger_finish\", \"context\", \"errors\", \"sweep\"].";
    assert_eq!(e.message(), expected);
}

#[test]
fn io_and_launch_errors_carry_their_cause() {
    let io = TraceError::ConfigIoError("permission denied".to_string());
    assert_eq!(io.message(), "permission denied");
    let sp = TraceError::LaunchError("No such file or directory".to_string());
    assert_eq!(sp.message(), "No such file or directory");
}
