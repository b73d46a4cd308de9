//! Deterministic rendering of the trace-configuration document.
//!
//! The document is specified line by line: [`doc_lines`] gives the exact
//! sequence of lines for a request, and [`doc_text`] joins them with a
//! newline after every line but the last. [`render_config`] produces
//! exactly that text.

use vstd::prelude::*;
use crate::decimal::{dec_text, lemma_dec_text_value, push_decimal, text_value};
use crate::events::{
    all_legal, contains_event, is_legal_event, legal_names, render_name, render_names,
    RENDER_EVENT_COUNT,
};
use crate::request::{TraceRequest, TraceRequestView};

verus! {

/// Number of lines in every rendered document.
pub const DOC_LINE_COUNT: usize = 30;

/// Position of the first `log_<event>` directive among the lines.
pub const LOG_FIRST_LINE: usize = 4;

/// Boolean directive values as they appear in the document.
pub open spec fn bool_text(b: bool) -> Seq<char> {
    if b { "true"@ } else { "false"@ }
}

/// The opening database-scope tag: parameterized by the matcher pattern
/// when one is given, the bare all-databases tag otherwise.
pub open spec fn db_tag_text(matcher: Option<Seq<char>>) -> Seq<char> {
    match matcher {
        Option::Some(p) => "<database "@ + p + ">"@,
        Option::None => "<database>"@,
    }
}

/// The include-filter line: when a filter is given, the directive with the
/// filter text in double quotes, verbatim; otherwise only the indentation,
/// the directive omitted.
pub open spec fn filter_line_text(filter: Option<Seq<char>>) -> Seq<char> {
    match filter {
        Option::Some(f) => "    "@ + "include_filter \""@ + f + "\""@,
        Option::None => "    "@,
    }
}

/// The `log_<event>` directive for the catalog entry at position `i`:
/// value `true` exactly when the entry was requested. The directive for
/// `statement_start` carries a trailing space.
pub open spec fn log_line_text(i: int, events: Seq<Seq<char>>) -> Seq<char> {
    "    log_"@ + render_names()[i] + " "@ + bool_text(events.contains(render_names()[i]))
        + if i == 4 { " "@ } else { Seq::<char>::empty() }
}

/// The `max_sql_length` directive with its decimal value.
pub open spec fn max_sql_line_text(n: nat) -> Seq<char> {
    "    max_sql_length "@ + dec_text(n)
}

/// The fixed directives between the event block and `max_sql_length`.
pub open spec fn static_lines() -> Seq<Seq<char>> {
    seq![
        "    print_plan false"@,
        "    print_perf false"@,
        "    log_blr_requests false"@,
        "    print_blr false"@,
        "    log_dyn_requests false"@,
        "    print_dyn false"@,
        "    time_threshold 100"@,
    ]
}

/// The fixed directives after `max_sql_length`, and the closing tag.
pub open spec fn tail_lines() -> Seq<Seq<char>> {
    seq![
        "    max_blr_length 500"@,
        "    max_dyn_length 500"@,
        "    max_arg_length 80"@,
        "    max_arg_count 30"@,
        "</database>"@,
    ]
}

/// Every line of the rendered document, in order. The document opens with
/// an empty line, then the database tag, the `enabled` directive, the
/// include-filter line, one `log_<event>` directive per catalog entry in
/// catalog order, the fixed block, `max_sql_length`, the fixed tail and
/// the closing tag.
pub open spec fn doc_lines(r: TraceRequestView) -> Seq<Seq<char>> {
    seq![
        Seq::<char>::empty(),
        db_tag_text(r.database_matcher),
        "    enabled true"@,
        filter_line_text(r.include_filter),
    ] + Seq::new(RENDER_EVENT_COUNT as nat, |i: int| log_line_text(i, r.events))
        + static_lines()
        + seq![max_sql_line_text(r.max_sql)]
        + tail_lines()
}

/// The first `n` lines, each followed by a newline.
pub open spec fn prefix_text(lines: Seq<Seq<char>>, n: int) -> Seq<char>
    decreases n,
{
    if n <= 0 {
        Seq::<char>::empty()
    } else {
        prefix_text(lines, n - 1) + lines[n - 1] + "\n"@
    }
}

/// The whole document: every line followed by a newline, except the last.
pub open spec fn doc_text(r: TraceRequestView) -> Seq<char> {
    prefix_text(doc_lines(r), doc_lines(r).len() - 1) + doc_lines(r).last()
}

/// Where each line of the document stands and what it holds.
pub proof fn lemma_doc_line_indices(r: TraceRequestView)
    ensures
        doc_lines(r).len() == DOC_LINE_COUNT,
        doc_lines(r)[0] == Seq::<char>::empty(),
        doc_lines(r)[1] == db_tag_text(r.database_matcher),
        doc_lines(r)[2] == "    enabled true"@,
        doc_lines(r)[3] == filter_line_text(r.include_filter),
        forall|i: int| 0 <= i < RENDER_EVENT_COUNT ==>
            doc_lines(r)[LOG_FIRST_LINE + i] == log_line_text(i, r.events),
        forall|i: int| 0 <= i < static_lines().len() ==>
            doc_lines(r)[17 + i] == static_lines()[i],
        doc_lines(r)[24] == max_sql_line_text(r.max_sql),
        forall|i: int| 0 <= i < tail_lines().len() ==>
            doc_lines(r)[25 + i] == tail_lines()[i],
{
}

/// A line is the log directive for the event `name`: it opens with the
/// indented `log_` prefix, then `name`, then a space before the value.
pub open spec fn is_log_directive(line: Seq<char>, name: Seq<char>) -> bool {
    &&& line.len() > 8 + name.len()
    &&& line.subrange(0, 8) == "    log_"@
    &&& line.subrange(8, 8 + name.len() as int) == name
    &&& line[8 + name.len() as int] == ' '
}

/// Lengths and distinguishing characters of the literals the document
/// is built from, as the directive-uniqueness proof needs them.
proof fn lemma_line_shapes()
    ensures
        "    log_"@.len() == 8,
        "    log_"@[0] == ' ',
        "    log_"@[4] == 'l',
        " "@.len() == 1,
        " "@[0] == ' ',
        "true"@.len() == 4,
        "false"@.len() == 5,
        "    enabled true"@.len() == 16,
        "    enabled true"@[4] == 'e',
        "    "@.len() == 4,
        "include_filter \""@.len() == 16,
        "include_filter \""@[0] == 'i',
        "<database "@.len() == 10,
        "<database "@[0] == '<',
        "<database>"@.len() == 10,
        "<database>"@[0] == '<',
        "    print_plan false"@.len() == 20,
        "    print_plan false"@[4] == 'p',
        "    print_perf false"@.len() == 20,
        "    print_perf false"@[4] == 'p',
        "    log_blr_requests false"@.len() == 26,
        "    log_blr_requests false"@[8] == 'b',
        "    log_blr_requests false"@.subrange(0, 8) == "    log_"@,
        "    print_blr false"@.len() == 19,
        "    print_blr false"@[4] == 'p',
        "    log_dyn_requests false"@.len() == 26,
        "    log_dyn_requests false"@[8] == 'd',
        "    log_dyn_requests false"@.subrange(0, 8) == "    log_"@,
        "    print_dyn false"@.len() == 19,
        "    print_dyn false"@[4] == 'p',
        "    time_threshold 100"@.len() == 22,
        "    time_threshold 100"@[4] == 't',
        "    max_sql_length "@.len() == 19,
        "    max_sql_length "@[4] == 'm',
        "    max_blr_length 500"@[4] == 'm',
        "    max_blr_length 500"@.len() == 22,
        "    max_dyn_length 500"@[4] == 'm',
        "    max_dyn_length 500"@.len() == 22,
        "    max_arg_length 80"@[4] == 'm',
        "    max_arg_length 80"@.len() == 21,
        "    max_arg_count 30"@[4] == 'm',
        "    max_arg_count 30"@.len() == 20,
        "</database>"@.len() == 11,
        "</database>"@[0] == '<',
{
    reveal_strlit("    log_");
    reveal_strlit(" ");
    reveal_strlit("true");
    reveal_strlit("false");
    reveal_strlit("    enabled true");
    reveal_strlit("    ");
    reveal_strlit("include_filter \"");
    reveal_strlit("<database ");
    reveal_strlit("<database>");
    reveal_strlit("    print_plan false");
    reveal_strlit("    print_perf false");
    reveal_strlit("    log_blr_requests false");
    reveal_strlit("    print_blr false");
    reveal_strlit("    log_dyn_requests false");
    reveal_strlit("    print_dyn false");
    reveal_strlit("    time_threshold 100");
    reveal_strlit("    max_sql_length ");
    reveal_strlit("    max_blr_length 500");
    reveal_strlit("    max_dyn_length 500");
    reveal_strlit("    max_arg_length 80");
    reveal_strlit("    max_arg_count 30");
    reveal_strlit("</database>");
    assert("    log_blr_requests false"@.subrange(0, 8) =~= "    log_"@);
    assert("    log_dyn_requests false"@.subrange(0, 8) =~= "    log_"@);
}

/// The catalog names never contain a space, never start with the first
/// letter of the fixed `blr`/`dyn` directives, and are told apart by
/// their length and first letter alone.
proof fn lemma_catalog_name_facts()
    ensures
        forall|i: int, t: int| 0 <= i < RENDER_EVENT_COUNT && 0 <= t
            < render_names()[i].len() ==> #[trigger] render_names()[i][t] != ' ',
        forall|i: int| 0 <= i < RENDER_EVENT_COUNT ==> (#[trigger] render_names()[i]).len() >= 5,
        forall|i: int| 0 <= i < RENDER_EVENT_COUNT ==> (#[trigger] render_names()[i])[0] != 'b'
            && render_names()[i][0] != 'd',
        forall|i: int, j: int| 0 <= i < RENDER_EVENT_COUNT && 0 <= j < RENDER_EVENT_COUNT && i != j
            ==> #[trigger] render_names()[i] != #[trigger] render_names()[j],
{
    reveal_strlit("connections");
    reveal_strlit("transactions");
    reveal_strlit("statement_prepare");
    reveal_strlit("statement_free");
    reveal_strlit("statement_start");
    reveal_strlit("statement_finish");
    reveal_strlit("procedure_start");
    reveal_strlit("procedure_finish");
    reveal_strlit("trigger_start");
    reveal_strlit("trigger_finish");
    reveal_strlit("context");
    reveal_strlit("errors");
    reveal_strlit("sweep");
    assert(render_names()[0].len() == 11 && render_names()[0][0] == 'c');
    assert(render_names()[1].len() == 12 && render_names()[1][0] == 't');
    assert(render_names()[2].len() == 17 && render_names()[2][0] == 's');
    assert(render_names()[3].len() == 14 && render_names()[3][0] == 's');
    assert(render_names()[4].len() == 15 && render_names()[4][0] == 's');
    assert(render_names()[5].len() == 16 && render_names()[5][0] == 's');
    assert(render_names()[6].len() == 15 && render_names()[6][0] == 'p');
    assert(render_names()[7].len() == 16 && render_names()[7][0] == 'p');
    assert(render_names()[8].len() == 13 && render_names()[8][0] == 't');
    assert(render_names()[9].len() == 14 && render_names()[9][0] == 't');
    assert(render_names()[10].len() == 7 && render_names()[10][0] == 'c');
    assert(render_names()[11].len() == 6 && render_names()[11][0] == 'e');
    assert(render_names()[12].len() == 5 && render_names()[12][0] == 's');
    assert forall|i: int, t: int| 0 <= i < RENDER_EVENT_COUNT && 0 <= t
        < render_names()[i].len() implies #[trigger] render_names()[i][t] != ' ' by {
        if i == 0 { assert(forall|u: int| 0 <= u < 11 ==> "connections"@[u] != ' '); }
        else if i == 1 { assert(forall|u: int| 0 <= u < 12 ==> "transactions"@[u] != ' '); }
        else if i == 2 { assert(forall|u: int| 0 <= u < 17 ==> "statement_prepare"@[u] != ' '); }
        else if i == 3 { assert(forall|u: int| 0 <= u < 14 ==> "statement_free"@[u] != ' '); }
        else if i == 4 { assert(forall|u: int| 0 <= u < 15 ==> "statement_start"@[u] != ' '); }
        else if i == 5 { assert(forall|u: int| 0 <= u < 16 ==> "statement_finish"@[u] != ' '); }
        else if i == 6 { assert(forall|u: int| 0 <= u < 15 ==> "procedure_start"@[u] != ' '); }
        else if i == 7 { assert(forall|u: int| 0 <= u < 16 ==> "procedure_finish"@[u] != ' '); }
        else if i == 8 { assert(forall|u: int| 0 <= u < 13 ==> "trigger_start"@[u] != ' '); }
        else if i == 9 { assert(forall|u: int| 0 <= u < 14 ==> "trigger_finish"@[u] != ' '); }
        else if i == 10 { assert(forall|u: int| 0 <= u < 7 ==> "context"@[u] != ' '); }
        else if i == 11 { assert(forall|u: int| 0 <= u < 6 ==> "errors"@[u] != ' '); }
        else { assert(forall|u: int| 0 <= u < 5 ==> "sweep"@[u] != ' '); }
    }
    assert forall|i: int, j: int| 0 <= i < RENDER_EVENT_COUNT && 0 <= j < RENDER_EVENT_COUNT
        && i != j implies #[trigger] render_names()[i] != #[trigger] render_names()[j] by {
        if render_names()[i] == render_names()[j] {
            assert(render_names()[i].len() == render_names()[j].len());
            assert(render_names()[i][0] == render_names()[j][0]);
            assert(false);
        }
    }
}

/// Exactly one `log_<event>` directive per catalog entry, never fewer,
/// never more: the lines at the catalog block hold, in catalog order, the
/// directive of each entry with value `true` exactly when the entry was
/// requested, and no other line of the document is a directive for any
/// catalog entry.
pub proof fn lemma_log_directives(r: TraceRequestView)
    ensures
        doc_lines(r).len() == DOC_LINE_COUNT,
        forall|i: int| 0 <= i < RENDER_EVENT_COUNT ==> {
            &&& #[trigger] doc_lines(r)[LOG_FIRST_LINE + i] == log_line_text(i, r.events)
            &&& is_log_directive(doc_lines(r)[LOG_FIRST_LINE + i], render_names()[i])
        },
        forall|j: int, i: int|
            0 <= j < DOC_LINE_COUNT && 0 <= i < RENDER_EVENT_COUNT && j != LOG_FIRST_LINE + i
            ==> !is_log_directive(#[trigger] doc_lines(r)[j], #[trigger] render_names()[i]),
{
    lemma_doc_line_indices(r);
    lemma_line_shapes();
    lemma_catalog_name_facts();
    assert forall|i: int| 0 <= i < RENDER_EVENT_COUNT implies
        is_log_directive(#[trigger] doc_lines(r)[LOG_FIRST_LINE + i], render_names()[i]) by {
        let line = log_line_text(i, r.events);
        let n = render_names()[i];
        assert(line.subrange(0, 8) =~= "    log_"@);
        assert(line.subrange(8, 8 + n.len() as int) =~= n);
        assert(line[8 + n.len() as int] == ' ');
        assert(line.len() > 8 + n.len());
    }
    assert forall|j: int, i: int|
        0 <= j < DOC_LINE_COUNT && 0 <= i < RENDER_EVENT_COUNT && j != LOG_FIRST_LINE + i
        implies !is_log_directive(#[trigger] doc_lines(r)[j], #[trigger] render_names()[i]) by {
        let line = doc_lines(r)[j];
        let n = render_names()[i];
        if is_log_directive(line, n) {
            assert(line[4] == "    log_"@[4]);
            assert(line[0] == "    log_"@[0]);
            if j == 0 {
                assert(line.len() == 0);
            } else if j == 1 {
                match r.database_matcher {
                    Option::Some(p) => { assert(line[0] == '<'); },
                    Option::None => { assert(line[0] == '<'); },
                }
            } else if j == 2 {
                assert(line[4] == 'e');
            } else if j == 3 {
                match r.include_filter {
                    Option::Some(f) => { assert(line[4] == 'i'); },
                    Option::None => { assert(line.len() == 4); },
                }
            } else if 4 <= j < 17 {
                let jj = j - 4;
                let np = render_names()[jj];
                assert(line == log_line_text(jj, r.events));
                if n.len() == np.len() {
                    assert(line.subrange(8, 8 + np.len() as int) =~= np);
                    assert(n == np);
                } else if n.len() < np.len() {
                    assert(line[8 + n.len() as int] == np[n.len() as int]);
                } else {
                    assert(line[8 + np.len() as int] == ' ');
                    assert(n[np.len() as int] == line[8 + np.len() as int]);
                }
            } else if j == 19 {
                assert(line[8] == 'b');
                assert(n[0] == line.subrange(8, 8 + n.len() as int)[0]);
            } else if j == 21 {
                assert(line[8] == 'd');
                assert(n[0] == line.subrange(8, 8 + n.len() as int)[0]);
            } else if j == 24 {
                assert(line[4] == 'm');
            } else if j == 29 {
                assert(line[0] == '<');
            } else {
                assert(line[4] != 'l');
            }
            assert(false);
        }
    }
}

/// The database-scope line renders the bare all-databases tag when no
/// matcher is given, and the tag parameterized with the pattern verbatim
/// when one is.
pub proof fn lemma_database_tag(r: TraceRequestView)
    ensures
        r.database_matcher is None ==> doc_lines(r)[1] == "<database>"@,
        r.database_matcher matches Some(p) ==> doc_lines(r)[1] == "<database "@ + p + ">"@,
{
    lemma_doc_line_indices(r);
}

/// Without a filter the include-filter directive is omitted: its line is
/// bare indentation. With a filter the directive carries the filter text
/// in double quotes, unescaped.
pub proof fn lemma_include_filter(r: TraceRequestView)
    ensures
        r.include_filter is None ==> doc_lines(r)[3] == "    "@,
        r.include_filter matches Some(f) ==> doc_lines(r)[3] == "    "@ + "include_filter \""@
            + f + "\""@,
{
    lemma_doc_line_indices(r);
}

/// The `max_sql_length` directive carries exactly the decimal rendering
/// of the request's bound, and that rendering reads back as the bound.
pub proof fn lemma_max_sql_value(r: TraceRequestView)
    ensures
        doc_lines(r)[24] == "    max_sql_length "@ + dec_text(r.max_sql),
        text_value(dec_text(r.max_sql)) == r.max_sql,
{
    lemma_doc_line_indices(r);
    lemma_dec_text_value(r.max_sql);
}

/// The document depends on the requested events only through membership:
/// two requests that agree on everything else and request the same set of
/// events (whatever the order or repetition) render byte-identically.
pub proof fn lemma_doc_events_membership(a: TraceRequestView, b: TraceRequestView)
    requires
        a.database_matcher == b.database_matcher,
        a.include_filter == b.include_filter,
        a.max_sql == b.max_sql,
        forall|e: Seq<char>| a.events.contains(e) <==> b.events.contains(e),
    ensures
        doc_text(a) == doc_text(b),
{
    assert forall|i: int| 0 <= i < RENDER_EVENT_COUNT implies log_line_text(i, a.events)
        == log_line_text(i, b.events) by {
        assert(a.events.contains(render_names()[i]) <==> b.events.contains(render_names()[i]));
    }
    assert(doc_lines(a) =~= doc_lines(b));
}

/// The identifier `connections` is rendered but never legal, so a request
/// that passed validation always renders its directive `false`.
pub proof fn lemma_connections_never_logged(r: TraceRequestView)
    requires
        all_legal(r.events),
    ensures
        !r.events.contains("connections"@),
        doc_lines(r)[LOG_FIRST_LINE as int] == "    log_"@ + "connections"@ + " "@ + "false"@,
{
    lemma_doc_line_indices(r);
    reveal_strlit("connections");
    reveal_strlit("transactions");
    reveal_strlit("statement_prepare");
    reveal_strlit("statement_free");
    reveal_strlit("statement_start");
    reveal_strlit("statement_finish");
    reveal_strlit("procedure_start");
    reveal_strlit("procedure_finish");
    reveal_strlit("trigger_start");
    reveal_strlit("trigger_finish");
    reveal_strlit("context");
    reveal_strlit("errors");
    reveal_strlit("sweep");
    assert(forall|t: int| 0 <= t < legal_names().len()
        ==> (#[trigger] legal_names()[t]).len() != "connections"@.len());
    if r.events.contains("connections"@) {
        let i = choose|i: int| 0 <= i < r.events.len() && r.events[i] == "connections"@;
        assert(is_legal_event(r.events[i]));
        let t = choose|t: int| 0 <= t < legal_names().len() && legal_names()[t] == "connections"@;
        assert(false);
    }
    assert(render_names()[0] == "connections"@);
    assert(doc_lines(r)[LOG_FIRST_LINE as int] =~= "    log_"@ + "connections"@ + " "@
        + "false"@);
}

/// Render the configuration document for `req`, byte for byte.
pub fn render_config(req: &TraceRequest) -> (r: String)
    ensures
        r@ == doc_text(req@),
{
    let ghost ls = doc_lines(req@);
    proof {
        lemma_doc_line_indices(req@);
    }
    let mut s = String::new();
    s.append("\n");
    proof {
        assert(prefix_text(ls, 0) == Seq::<char>::empty());
        assert(s@ =~= prefix_text(ls, 1));
    }
    match &req.database_matcher {
        Option::Some(p) => {
            s.append("<database ");
            s.append(p.as_str());
            s.append(">");
        },
        Option::None => {
            s.append("<database>");
        },
    }
    s.append("\n");
    proof {
        assert(s@ =~= prefix_text(ls, 2));
    }
    s.append("    enabled true");
    s.append("\n");
    proof {
        assert(s@ =~= prefix_text(ls, 3));
    }
    s.append("    ");
    match &req.include_filter {
        Option::Some(f) => {
            s.append("include_filter \"");
            s.append(f.as_str());
            s.append("\"");
        },
        Option::None => {},
    }
    s.append("\n");
    proof {
        assert(s@ =~= prefix_text(ls, 4));
    }
    let mut i: usize = 0;
    while i < RENDER_EVENT_COUNT
        invariant
            i <= RENDER_EVENT_COUNT,
            ls == doc_lines(req@),
            ls.len() == DOC_LINE_COUNT,
            forall|j: int| 0 <= j < RENDER_EVENT_COUNT ==>
                ls[LOG_FIRST_LINE + j] == log_line_text(j, req@.events),
            s@ == prefix_text(ls, LOG_FIRST_LINE + i),
        decreases RENDER_EVENT_COUNT - i,
    {
        let name = render_name(i);
        s.append("    log_");
        s.append(name);
        s.append(" ");
        if contains_event(&req.events, name) {
            s.append("true");
        } else {
            s.append("false");
        }
        if i == 4 {
            s.append(" ");
        }
        s.append("\n");
        proof {
            assert(s@ =~= prefix_text(ls, LOG_FIRST_LINE + i + 1));
        }
        i += 1;
    }
    s.append("    print_plan false");
    s.append("\n");
    proof {
        assert(s@ =~= prefix_text(ls, 18));
    }
    s.append("    print_perf false");
    s.append("\n");
    proof {
        assert(s@ =~= prefix_text(ls, 19));
    }
    s.append("    log_blr_requests false");
    s.append("\n");
    proof {
        assert(s@ =~= prefix_text(ls, 20));
    }
    s.append("    print_blr false");
    s.append("\n");
    proof {
        assert(s@ =~= prefix_text(ls, 21));
    }
    s.append("    log_dyn_requests false");
    s.append("\n");
    proof {
        assert(s@ =~= prefix_text(ls, 22));
    }
    s.append("    print_dyn false");
    s.append("\n");
    proof {
        assert(s@ =~= prefix_text(ls, 23));
    }
    s.append("    time_threshold 100");
    s.append("\n");
    proof {
        assert(s@ =~= prefix_text(ls, 24));
    }
    s.append("    max_sql_length ");
    push_decimal(&mut s, req.max_sql);
    s.append("\n");
    proof {
        assert(s@ =~= prefix_text(ls, 25));
    }
    s.append("    max_blr_length 500");
    s.append("\n");
    proof {
        assert(s@ =~= prefix_text(ls, 26));
    }
    s.append("    max_dyn_length 500");
    s.append("\n");
    proof {
        assert(s@ =~= prefix_text(ls, 27));
    }
    s.append("    max_arg_length 80");
    s.append("\n");
    proof {
        assert(s@ =~= prefix_text(ls, 28));
    }
    s.append("    max_arg_count 30");
    s.append("\n");
    proof {
        assert(s@ =~= prefix_text(ls, 29));
    }
    s.append("</database>");
    proof {
        assert(s@ =~= doc_text(req@));
    }
    s
}

} // verus!
