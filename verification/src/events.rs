//! The fixed catalog of trace event identifiers and request validation.
//!
//! Two orderings matter. `render_names` lists every identifier for which
//! the configuration document carries a `log_<name>` directive, in the
//! order the document emits them. `legal_names` is the subset a caller may
//! request: every rendered identifier except the first (`connections`),
//! which the document can name but no request may subscribe to.

use vstd::prelude::*;
use crate::errors::TraceError;

verus! {

/// Number of event identifiers rendered in the configuration document.
pub const RENDER_EVENT_COUNT: usize = 13;

/// Number of event identifiers a caller may legally request.
pub const LEGAL_EVENT_COUNT: usize = 12;

/// The identifiers rendered in the document, in document order.
pub open spec fn render_names() -> Seq<Seq<char>> {
    seq![
        "connections"@,
        "transactions"@,
        "statement_prepare"@,
        "statement_free"@,
        "statement_start"@,
        "statement_finish"@,
        "procedure_start"@,
        "procedure_finish"@,
        "trigger_start"@,
        "trigger_finish"@,
        "context"@,
        "errors"@,
        "sweep"@,
    ]
}

/// The identifiers a request may contain: all rendered ones but the first.
pub open spec fn legal_names() -> Seq<Seq<char>> {
    render_names().skip(1)
}

/// An event identifier is legal when the catalog lists it.
pub open spec fn is_legal_event(e: Seq<char>) -> bool {
    legal_names().contains(e)
}

/// Every requested identifier is legal.
pub open spec fn all_legal(evs: Seq<Seq<char>>) -> bool {
    forall|i: int| 0 <= i < evs.len() ==> is_legal_event(#[trigger] evs[i])
}

/// `k` indexes the first illegal identifier of `evs`.
pub open spec fn first_illegal_at(evs: Seq<Seq<char>>, k: int) -> bool {
    &&& 0 <= k < evs.len()
    &&& !is_legal_event(evs[k])
    &&& forall|j: int| 0 <= j < k ==> is_legal_event(#[trigger] evs[j])
}

/// The rendered identifier at position `i`, in document order.
pub fn render_name(i: usize) -> (r: &'static str)
    requires
        i < RENDER_EVENT_COUNT,
    ensures
        r@ == render_names()[i as int],
{
    match i {
        0 => "connections",
        1 => "transactions",
        2 => "statement_prepare",
        3 => "statement_free",
        4 => "statement_start",
        5 => "statement_finish",
        6 => "procedure_start",
        7 => "procedure_finish",
        8 => "trigger_start",
        9 => "trigger_finish",
        10 => "context",
        11 => "errors",
        _ => "sweep",
    }
}

/// The legal identifier at position `i`, in catalog order.
pub fn legal_name(i: usize) -> (r: &'static str)
    requires
        i < LEGAL_EVENT_COUNT,
    ensures
        r@ == legal_names()[i as int],
{
    render_name(i + 1)
}

/// Whether a string equals the given slice, character for character.
pub(crate) fn str_eq(a: &String, b: &str) -> (r: bool)
    ensures
        r == (a@ == b@),
{
    let bs = String::from_str(b);
    *a == bs
}

/// Whether `e` is a member of the legal catalog.
pub fn is_event_legal(e: &String) -> (r: bool)
    ensures
        r == is_legal_event(e@),
{
    let mut j: usize = 0;
    while j < LEGAL_EVENT_COUNT
        invariant
            j <= LEGAL_EVENT_COUNT,
            forall|t: int| 0 <= t < j ==> legal_names()[t] != e@,
        decreases LEGAL_EVENT_COUNT - j,
    {
        if str_eq(e, legal_name(j)) {
            return true;
        }
        j += 1;
    }
    proof {
        assert(legal_names().len() == LEGAL_EVENT_COUNT);
    }
    false
}

/// Whether the request's event list contains the identifier `name`.
pub fn contains_event(events: &Vec<String>, name: &str) -> (r: bool)
    ensures
        r == events.deep_view().contains(name@),
{
    let mut i: usize = 0;
    while i < events.len()
        invariant
            i <= events.len(),
            events.deep_view().len() == events.len(),
            forall|j: int| 0 <= j < i ==> events.deep_view()[j] != name@,
        decreases events.len() - i,
    {
        if str_eq(&events[i], name) {
            proof {
                assert(events.deep_view()[i as int] == name@);
            }
            return true;
        }
        i += 1;
    }
    false
}

/// Check every requested identifier against the legal catalog, in input
/// order, and report the first illegal one. Success exactly when every
/// identifier is legal; on failure the error names the first illegal
/// identifier of the input.
pub fn validate_events(events: &Vec<String>) -> (r: Result<(), TraceError>)
    ensures
        match r {
            Result::Ok(()) => all_legal(events.deep_view()),
            Result::Err(e) => {
                &&& !all_legal(events.deep_view())
                &&& e matches TraceError::InvalidEvent(name) && exists|k: int|
                    #[trigger] first_illegal_at(events.deep_view(), k) && name@ == events.deep_view()[k]
            },
        },
{
    let ghost evs = events.deep_view();
    let mut i: usize = 0;
    while i < events.len()
        invariant
            i <= events.len(),
            evs == events.deep_view(),
            evs.len() == events.len(),
            forall|j: int| 0 <= j < i ==> is_legal_event(#[trigger] evs[j]),
        decreases events.len() - i,
    {
        proof {
            assert(evs[i as int] == events[i as int]@);
        }
        if !is_event_legal(&events[i]) {
            proof {
                assert(first_illegal_at(evs, i as int));
            }
            return Err(TraceError::InvalidEvent(events[i].clone()));
        }
        i += 1;
    }
    Ok(())
}

/// Any collection drawn from the legal catalog passes validation: its
/// identifiers are all legal, so `validate_events` returns `Ok` on it.
pub proof fn lemma_catalog_subset_validates(evs: Seq<Seq<char>>)
    requires
        forall|i: int| 0 <= i < evs.len() ==> legal_names().contains(#[trigger] evs[i]),
    ensures
        all_legal(evs),
{
}

/// The first illegal position is unique, so the identifier that
/// validation names is determined by the input alone.
pub proof fn lemma_first_illegal_unique(evs: Seq<Seq<char>>, k1: int, k2: int)
    requires
        first_illegal_at(evs, k1),
        first_illegal_at(evs, k2),
    ensures
        k1 == k2,
{
}

/// An input holding an illegal identifier never validates, and some
/// first illegal position exists, so `validate_events` reports exactly
/// one deterministic culprit.
pub proof fn lemma_illegal_event_rejected(evs: Seq<Seq<char>>, k: int)
    requires
        0 <= k < evs.len(),
        !is_legal_event(evs[k]),
    ensures
        !all_legal(evs),
        exists|j: int| #[trigger] first_illegal_at(evs, j) && j <= k,
    decreases k,
{
    if forall|j: int| 0 <= j < k ==> is_legal_event(#[trigger] evs[j]) {
        assert(first_illegal_at(evs, k));
    } else {
        let j = choose|j: int| 0 <= j < k && !is_legal_event(#[trigger] evs[j]);
        lemma_illegal_event_rejected(evs, j);
    }
}

} // verus!
