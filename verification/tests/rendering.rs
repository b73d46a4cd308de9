use fbtrace::render::render_config;
use fbtrace::request::TraceRequest;

fn request(
    host: Option<&str>,
    user: &str,
    pass: &str,
    max_sql: usize,
    matcher: Option<&str>,
    filter: Option<&str>,
    events: &[&str],
) -> TraceRequest {
    TraceRequest {
        host: host.map(|s| s.to_string()),
        user: user.to_string(),
        pass: pass.to_string(),
        max_sql,
        database_matcher: matcher.map(|s| s.to_string()),
        include_filter: filter.map(|s| s.to_string()),
        events: events.iter().map(|s| s.to_string()).collect(),
    }
}

#[test]
fn renders_transactions_and_errors_document() {
    let req = request(
        None,
        "sysdba",
        "masterkey",
        65536,
        None,
        None,
        &["transactions", "errors"],
    );
    let doc = render_config(&req);
    let expected = "\n<database>\n    enabled true\n    \n    log_connections false\n    log_transactions true\n    log_statement_prepare false\n    log_statement_free false\n    log_statement_start false \n    log_statement_finish false\n    log_procedure_start false\n    log_procedure_finish false\n    log_trigger_start false\n    log_trigger_finish false\n    log_context false\n    log_errors true\n    log_sweep false\n    print_plan false\n    print_perf false\n    log_blr_requests false\n    print_blr false\n    log_dyn_requests false\n    print_dyn false\n    time_threshold 100\n    max_sql_length 65536\n    max_blr_length 500\n    max_dyn_length 500\n    max_arg_length 80\n    max_arg_count 30\n</database>";
    assert_eq!(doc, expected);
}

#[test]
fn renders_matcher_and_filter_document() {
    let req = request(
        None,
        "sysdba",
        "masterkey",
        65536,
        Some("MYDB"),
        Some("SELECT%"),
        &["statement_prepare"],
    );
    let doc = render_config(&req);
    let expected = "\n<database MYDB>\n    enabled true\n    include_filter \"SELECT%\"\n    log_connections false\n    log_transactions false\n    log_statement_prepare true\n    log_statement_free false\n    log_statement_start false \n    log_statement_finish false\n    log_procedure_start false\n    log_procedure_finish false\n    log_trigger_start false\n    log_trigger_finish false\n    log_context false\n    log_errors false\n    log_sweep false\n    print_plan false\n    print_perf false\n    log_blr_requests false\n    print_blr false\n    log_dyn_requests false\n    print_dyn false\n    time_threshold 100\n    max_sql_length 65536\n    max_blr_length 500\n    max_dyn_length 500\n    max_arg_length 80\n    max_arg_count 30\n</database>";
    assert_eq!(doc, expected);
}

#[test]
fn rendering_is_deterministic() {
    let req = request(
        Some("dbhost"),
        "u",
        "p",
        123,
        Some("PAT%"),
        Some("UPDATE%"),
        &["sweep", "context"],
    );
    let first = render_config(&req);
    let second = render_config(&req);
    assert_eq!(first, second);
}

#[test]
fn event_order_and_duplicates_do_not_change_the_document() {
    let a = request(None, "u", "p", 1, None, None, &["errors", "sweep"]);
    let b = request(None, "u", "p", 1, None, None, &["sweep", "errors", "sweep"]);
    assert_eq!(render_config(&a), render_config(&b));
}

#[test]
fn missing_matcher_renders_bare_database_tag() {
    let req = request(None, "u", "p", 1, None, None, &[]);
    let doc = render_config(&req);
    assert!(doc.starts_with("\n<database>\n"));
}

#[test]
fn matcher_renders_parameterized_database_tag() {
    let req = request(None, "u", "p", 1, Some("EMPLOYEE.FDB"), None, &[]);
    let doc = render_config(&req);
    assert!(doc.starts_with("\n<database EMPLOYEE.FDB>\n"));
}

#[test]
fn missing_filter_omits_include_filter_directive() {
    let req = request(None, "u", "p", 1, None, None, &[]);
    let doc = render_config(&req);
    assert!(!doc.contains("include_filter"));
}

#[test]
fn filter_is_rendered_quoted_and_verbatim() {
    let req = request(None, "u", "p", 1, None, Some("SELECT % FROM \"T\""), &[]);
    let doc = render_config(&req);
    assert!(doc.contains("    include_filter \"SELECT % FROM \"T\"\"\n"));
}

#[test]
fn max_sql_length_is_rendered_in_decimal() {
    for (n, line) in [
        (0usize, "    max_sql_length 0\n"),
        (7, "    max_sql_length 7\n"),
        (100, "    max_sql_length 100\n"),
        (65536, "    max_sql_length 65536\n"),
        (18446744073709551615, "    max_sql_length 18446744073709551615\n"),
    ] {
        let req = request(None, "u", "p", n, None, None, &[]);
        let doc = render_config(&req);
        assert!(doc.contains(line), "missing {line:?}");
    }
}

#[test]
fn one_log_directive_per_catalog_entry() {
    let req = request(None, "u", "p", 1, None, None, &["transactions"]);
    let doc = render_config(&req);
    for name in [
        "connections",
        "transactions",
        "statement_prepare",
        "statement_free",
        "statement_start",
        "statement_finish",
        "procedure_start",
        "procedure_finish",
        "trigger_start",
        "trigger_finish",
        "context",
        "errors",
        "sweep",
    ] {
        let directive = format!("    log_{name} ");
        let count = doc.matches(&directive).count();
        assert_eq!(count, 1, "directive for {name} appears {count} times");
        let value = if name == "transactions" { "true" } else { "false" };
        assert!(doc.contains(&format!("    log_{name} {value}")));
    }
}
